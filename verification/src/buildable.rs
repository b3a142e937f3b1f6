//! Recipes that the editor can build, show and loop.

use crate::drawable::{Drawable, Graphic};
use crate::particle::{longest_span, Explosion, ExplosionBuilder};
use crate::updateable::Updateable;
use crate::CenterPt;
use vstd::prelude::*;

verus! {

/// A recipe: it builds an object at a point, knows how long the object
/// lasts, and can show its own settings as shapes.
pub trait Buildable: Default + Clone {
    /// What is built.
    type Byproduct: Updateable + Drawable;

    /// Whether the recipe is fit to build from.
    spec fn buildable(&self) -> bool;

    /// Whether `product` is a possible outcome of building at `center`.
    spec fn may_yield(&self, center: CenterPt, product: Option<Self::Byproduct>) -> bool;

    /// The time after which what was built is over.
    spec fn loop_time(&self) -> i32;

    /// The shapes that show the recipe around `center`.
    spec fn gizmo_shapes(&self, center: CenterPt) -> Seq<Graphic>;

    fn build(self, center: CenterPt) -> (product: Option<Self::Byproduct>)
        requires
            self.buildable(),
        ensures
            self.may_yield(center, product),
    ;

    fn max_loop_time(&self) -> (time: i32)
        ensures
            time == self.loop_time(),
    ;

    fn draw_gizmos_at(&self, center: CenterPt) -> (shapes: Vec<Graphic>)
        ensures
            shapes@ == self.gizmo_shapes(center),
    ;

    /// The stem of the names of the recipe's editor panels.
    fn get_base_id() -> &'static str;

    /// The file in which the recipe is kept unless another is named.
    fn get_default_file_name() -> &'static str;

    /// A clone is as fit to build from as the recipe it was cloned from,
    /// and builds the same.
    proof fn lemma_clone_builds_alike(&self, other: &Self)
        requires
            cloned(*self, *other),
        ensures
            other.buildable() == self.buildable(),
            forall|center: CenterPt, product: Option<Self::Byproduct>|
                #[trigger] other.may_yield(center, product) == self.may_yield(center, product),
    ;
}

impl Buildable for ExplosionBuilder {
    type Byproduct = Explosion;

    open spec fn buildable(&self) -> bool {
        self.valid()
    }

    open spec fn may_yield(&self, center: CenterPt, product: Option<Explosion>) -> bool {
        &&& product is None <==> self@.len() == 0
        &&& product matches Some(e) ==> self.may_build(center, e@)
    }

    open spec fn loop_time(&self) -> i32 {
        longest_span(self@)
    }

    open spec fn gizmo_shapes(&self, center: CenterPt) -> Seq<Graphic> {
        self.gizmos(center)
    }

    fn build(self, center: CenterPt) -> (product: Option<Explosion>)
        ensures
            product is None <==> self@.len() == 0,
            product matches Some(e) ==> self.may_build(center, e@),
    {
        ExplosionBuilder::build(self, center)
    }

    fn max_loop_time(&self) -> (time: i32)
        ensures
            time == longest_span(self@),
    {
        ExplosionBuilder::max_loop_time(self)
    }

    fn draw_gizmos_at(&self, center: CenterPt) -> (shapes: Vec<Graphic>)
        ensures
            shapes@ == self.gizmos(center),
    {
        ExplosionBuilder::draw_gizmos_at(self, center)
    }

    fn get_base_id() -> (id: &'static str)
        ensures
            id@ == "exp"@,
    {
        "exp"
    }

    fn get_default_file_name() -> (name: &'static str)
        ensures
            name@ == "explosion.yaml"@,
    {
        "explosion.yaml"
    }

    proof fn lemma_clone_builds_alike(&self, other: &Self) {
        assert(other@ == self@);
        assert forall|center: CenterPt, product: Option<Explosion>| #[trigger]
            other.may_yield(center, product) == self.may_yield(center, product) by {
            if product is Some {
                let built = product->0@;
                if self.may_build(center, built) {
                    let batches = choose|batches: Seq<Seq<crate::particle::CircleParticle>>|
                        #[trigger] self.built_from(center, batches, built);
                    assert(other.built_from(center, batches, built));
                }
                if other.may_build(center, built) {
                    let batches = choose|batches: Seq<Seq<crate::particle::CircleParticle>>|
                        #[trigger] other.built_from(center, batches, built);
                    assert(self.built_from(center, batches, built));
                }
            }
        }
    }
}

} // verus!
