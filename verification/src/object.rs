//! The scene's objects: user-placed actors followed by the fixed objects.
//!
//! The manager is generic over the object type `O` and the type `L` of the
//! bind group layout the objects are created with; the caller instantiates
//! them with its GPU-backed types.

use vstd::prelude::*;

verus! {

/// The objects of the scene: actors, which can be added and removed, and one
/// fixed object (the ground grid) that is always drawn after them.
pub struct ObjectManager<O, L> {
    /// The layout every object's bind group is made with.
    pub bind_group_layout: L,
    actors: Vec<O>,
    immutable_objects: [O; 1],
}

impl<O, L> ObjectManager<O, L> {
    /// The actors, in the order they were added (less those removed).
    pub closed spec fn actors(&self) -> Seq<O> {
        self.actors@
    }

    /// The layout every object's bind group is made with.
    pub closed spec fn layout(&self) -> L {
        self.bind_group_layout
    }

    /// The fixed objects.
    pub closed spec fn immutable_objects(&self) -> Seq<O> {
        self.immutable_objects@
    }

    /// Every object of the scene, in drawing order: the actors, then the fixed objects.
    pub open spec fn objects(&self) -> Seq<O> {
        self.actors() + self.immutable_objects()
    }

    /// A scene with no actors and `grid` as its one fixed object.
    pub fn new(bind_group_layout: L, grid: O) -> (manager: Self)
        ensures
            manager.layout() == bind_group_layout,
            manager.actors() == Seq::<O>::empty(),
            manager.immutable_objects() == seq![grid],
    {
        let manager = ObjectManager { bind_group_layout, actors: Vec::new(), immutable_objects: [grid] };
        assert(manager.immutable_objects@ =~= seq![grid]);
        manager
    }

    /// Appends an actor.
    pub fn add_actor(&mut self, object: O)
        ensures
            final(self).actors() == old(self).actors().push(object),
            final(self).immutable_objects() == old(self).immutable_objects(),
            final(self).layout() == old(self).layout(),
    {
        self.actors.push(object);
    }

    /// Removes the actor at `index`; the actors after it move down by one.
    pub fn remove_actor(&mut self, index: usize)
        requires
            index < old(self).actors().len(),
        ensures
            final(self).actors() == old(self).actors().remove(index as int),
            final(self).immutable_objects() == old(self).immutable_objects(),
            final(self).layout() == old(self).layout(),
    {
        self.actors.remove(index);
    }

    /// Every object of the scene, in drawing order.
    pub fn iter(&self) -> (objects: Vec<&O>)
        ensures
            objects@.len() == self.objects().len(),
            forall|i: int| 0 <= i < objects@.len() ==> *objects@[i] == self.objects()[i],
    {
        let mut objects: Vec<&O> = Vec::new();
        let n = self.actors.len();
        for i in 0..n
            invariant
                n == self.actors@.len(),
                objects@.len() == i,
                forall|j: int| 0 <= j < i ==> *objects@[j] == self.objects()[j],
        {
            objects.push(&self.actors[i]);
        }
        objects.push(&self.immutable_objects[0]);
        proof {
            broadcast use vstd::array::array_len_matches_n;
        }
        objects
    }

    /// The object at `index` in drawing order, to be changed in place.
    pub fn object_mut(&mut self, index: usize) -> (object: &mut O)
        requires
            index < old(self).objects().len(),
        ensures
            *object == old(self).objects()[index as int],
            final(self).objects() == old(self).objects().update(index as int, *final(object)),
            final(self).actors().len() == old(self).actors().len(),
            final(self).layout() == old(self).layout(),
    {
        proof {
            broadcast use vstd::array::array_len_matches_n;
        }
        if index < self.actors.len() {
            &mut self.actors[index]
        } else {
            &mut self.immutable_objects[0]
        }
    }
}


/// The scene always holds exactly one fixed object, drawn after every actor.
pub proof fn law_fixed_object_drawn_last<O, L>(manager: ObjectManager<O, L>)
    ensures
        manager.immutable_objects().len() == 1,
        manager.objects().len() == manager.actors().len() + 1,
        manager.objects().last() == manager.immutable_objects()[0],
        forall|i: int|
            0 <= i < manager.actors().len() ==> #[trigger] manager.objects()[i]
                == manager.actors()[i],
{
    broadcast use vstd::array::array_len_matches_n;

}

/// Removing the actor that was just added gives back the actors as they were.
pub proof fn law_remove_undoes_add<O>(actors: Seq<O>, object: O)
    ensures
        actors.push(object).remove(actors.len() as int) == actors,
{
    assert(actors.push(object).remove(actors.len() as int) =~= actors);
}

/// Removing an actor keeps the others in their order.
pub proof fn law_remove_keeps_order<O>(actors: Seq<O>, index: int)
    requires
        0 <= index < actors.len(),
    ensures
        actors.remove(index) == actors.take(index) + actors.skip(index + 1),
{
    assert(actors.remove(index) =~= actors.take(index) + actors.skip(index + 1));
}

} // verus!
