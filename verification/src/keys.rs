//! The key bindings, as their file describes them, and the events that the
//! keys stand for.

use vstd::prelude::*;
use crate::event::Event;
use crate::scalar::MouseDistance;

verus! {

/// For each action, the keys that ask for it. An action that the file leaves
/// out has no key.
#[allow(non_snake_case)]
#[derive(Clone, Debug, Default, PartialEq, Eq)]
pub struct Keybindings {
    pub Right: Vec<String>,
    pub Left: Vec<String>,
    pub Up: Vec<String>,
    pub Down: Vec<String>,
    pub ZoomIn: Vec<String>,
}

/// Each of `keys` with the event that it stands for.
pub open spec fn bound_to(keys: Seq<String>, event: Event<MouseDistance>) -> Seq<
    (Seq<char>, Event<MouseDistance>),
> {
    keys.map_values(|key: String| (key@, event))
}

/// What each of `bindings` is worth: the characters of the key, and the
/// event.
pub open spec fn binding_views(bindings: Seq<(String, Event<MouseDistance>)>) -> Seq<
    (Seq<char>, Event<MouseDistance>),
> {
    bindings.map_values(|binding: (String, Event<MouseDistance>)| (binding.0@, binding.1))
}

/// Adds each of `keys`, bound to `event`, to `bindings`.
fn bind(
    bindings: &mut Vec<(String, Event<MouseDistance>)>,
    keys: &Vec<String>,
    event: Event<MouseDistance>,
)
    ensures
        binding_views(final(bindings)@) == binding_views(old(bindings)@) + bound_to(keys@, event),
{
    let mut i: usize = 0;
    assert(binding_views(bindings@) =~= binding_views(old(bindings)@) + bound_to(
        keys@.take(0),
        event,
    ));
    while i < keys.len()
        invariant
            i <= keys.len(),
            binding_views(bindings@) == binding_views(old(bindings)@) + bound_to(
                keys@.take(i as int),
                event,
            ),
        decreases keys.len() - i,
    {
        let ghost before = binding_views(bindings@);
        bindings.push((keys[i].clone(), event));
        proof {
            assert(binding_views(bindings@) =~= before.push((keys@[i as int]@, event)));
            assert(bound_to(keys@.take(i + 1), event) =~= bound_to(keys@.take(i as int), event).push(
                (keys@[i as int]@, event),
            ));
        }
        i = i + 1;
    }
    assert(keys@.take(i as int) =~= keys@);
}

impl Keybindings {
    /// The keys with their events: those for a move right, left, up and
    /// down, then those for zooming in, each list in its order.
    pub open spec fn bindings_spec(self) -> Seq<(Seq<char>, Event<MouseDistance>)> {
        bound_to(self.Right@, Event::Right) + bound_to(self.Left@, Event::Left) + bound_to(
            self.Up@,
            Event::Up,
        ) + bound_to(self.Down@, Event::Down) + bound_to(self.ZoomIn@, Event::ZoomIn)
    }

    /// Every key with the event that it stands for.
    pub fn bindings(&self) -> (r: Vec<(String, Event<MouseDistance>)>)
        ensures
            binding_views(r@) == self.bindings_spec(),
    {
        let mut bindings: Vec<(String, Event<MouseDistance>)> = Vec::new();
        assert(binding_views(bindings@) =~= Seq::empty());
        bind(&mut bindings, &self.Right, Event::Right);
        bind(&mut bindings, &self.Left, Event::Left);
        bind(&mut bindings, &self.Up, Event::Up);
        bind(&mut bindings, &self.Down, Event::Down);
        bind(&mut bindings, &self.ZoomIn, Event::ZoomIn);
        bindings
    }
}

} // verus!
