//! The loop that shows an explosion over and over while it is edited.

use crate::buildable::Buildable;
use crate::drawable::{Drawable, Graphic};
use crate::fixed::plus;
use crate::particle::{longest_span, visible_discs, CircleParticle, Explosion, ExplosionBuilder};
use crate::updateable::Updateable;
use crate::CenterPt;
use vstd::prelude::*;

verus! {

/// A recipe and the explosion that is currently built from it.
#[derive(Debug)]
pub struct ExplosionPreview {
    pub builder: ExplosionBuilder,
    pub explosion: Option<Explosion>,
    /// Seconds since the explosion was built.
    pub time: i32,
    /// The time after which the explosion is dropped and built again.
    pub max_time: i32,
}

impl ExplosionPreview {
    /// A preview of `builder` that builds its first explosion on the next
    /// update.
    pub fn new(builder: ExplosionBuilder) -> (p: Self)
        ensures
            p.builder == builder,
            p.explosion is None,
            p.time == 0,
            p.max_time == 0,
    {
        Self { builder, explosion: None, time: 0, max_time: 0 }
    }

    /// Whether `after` can follow this preview when a running explosion
    /// takes a step of `delta_time`: the clock moves on, the explosion
    /// advances, and once the clock has reached `max_time` it is dropped.
    pub open spec fn runs_to(self, delta_time: i32, after: Self) -> bool {
        &&& self.explosion is Some
        &&& after.builder == self.builder
        &&& after.max_time == self.max_time
        &&& after.time == plus(self.time, delta_time)
        &&& if after.time >= self.max_time {
            after.explosion is None
        } else {
            &&& after.explosion is Some
            &&& self.explosion->0.steps_to(delta_time, after.explosion->0)
        }
    }

    /// Whether `after` can follow this preview when there is no explosion:
    /// one is built at `center`, the clock starts again, and `max_time` is
    /// taken from the recipe as it is now.
    pub open spec fn restarts_to(self, center: CenterPt, after: Self) -> bool {
        &&& self.explosion is None
        &&& after.builder == self.builder
        &&& after.time == 0
        &&& after.max_time == longest_span(self.builder@)
        &&& after.explosion is None <==> self.builder@.len() == 0
        &&& after.explosion matches Some(e) ==> self.builder.may_build(center, e@)
    }

    /// What the preview shows: the explosion, while there is one.
    pub open spec fn shapes(self) -> Seq<Graphic> {
        match self.explosion {
            Some(explosion) => visible_discs(explosion@),
            None => Seq::empty(),
        }
    }

    /// Lists what the preview shows.
    pub fn draw(&self) -> (shapes: Vec<Graphic>)
        ensures
            shapes@ == self.shapes(),
    {
        match &self.explosion {
            Some(explosion) => explosion.draw(),
            None => Vec::new(),
        }
    }

    /// Lists the shapes that show the recipe's settings around `center`.
    pub fn draw_gizmos(&self, center: CenterPt) -> (shapes: Vec<Graphic>)
        ensures
            shapes@ == self.builder.gizmos(center),
    {
        self.builder.draw_gizmos_at(center)
    }

    /// One frame of the preview.
    pub fn update(&mut self, delta_time: i32, center: CenterPt)
        requires
            old(self).builder.valid(),
        ensures
            old(self).explosion is Some ==> old(self).runs_to(delta_time, *final(self)),
            old(self).explosion is None ==> old(self).restarts_to(center, *final(self)),
    {
        if self.explosion.is_some() {
            self.time = plus(self.time, delta_time);
            match &mut self.explosion {
                Some(explosion) => {
                    explosion.update(delta_time);
                },
                None => {},
            }
            if self.time >= self.max_time {
                self.explosion = None;
            }
        } else {
            let builder = self.builder.clone();
            self.explosion = builder.build(center);
            proof {
                if self.explosion is Some {
                    let built = self.explosion->0@;
                    let batches = choose|batches: Seq<Seq<CircleParticle>>| #[trigger]
                        builder.built_from(center, batches, built);
                    assert(self.builder.built_from(center, batches, built));
                }
            }
            self.time = 0;
            self.max_time = self.builder.max_loop_time();
        }
    }
}

/// A recipe of any buildable kind and what is currently built from it.
pub struct PreviewBuildableData<Editing: Buildable> {
    pub builder: Editing,
    pub game_object: Option<Editing::Byproduct>,
    /// Seconds since the object was built.
    pub time: i32,
    /// The time after which the object is dropped and built again.
    pub max_time: i32,
}

impl<Editing: Buildable> PreviewBuildableData<Editing> {
    /// A preview of `builder` that builds its first object on the next
    /// update.
    pub fn new(builder: Editing) -> (p: Self)
        ensures
            p.builder == builder,
            p.game_object is None,
            p.time == 0,
            p.max_time == 0,
    {
        Self { builder, game_object: None, time: 0, max_time: 0 }
    }

    /// Whether `after` can follow this preview when there is an object: the
    /// clock moves on, the object advances, and once the clock has reached
    /// `max_time` it is dropped.
    pub open spec fn runs_to(self, delta_time: i32, after: Self) -> bool {
        &&& self.game_object is Some
        &&& after.builder == self.builder
        &&& after.max_time == self.max_time
        &&& after.time == plus(self.time, delta_time)
        &&& if after.time >= self.max_time {
            after.game_object is None
        } else {
            &&& after.game_object is Some
            &&& self.game_object->0.advances_to(delta_time, &after.game_object->0)
        }
    }

    /// Whether `after` can follow this preview when there is no object: one
    /// is built at `center`, the clock starts again, and `max_time` is taken
    /// from the recipe as it is now.
    pub open spec fn restarts_to(self, center: CenterPt, after: Self) -> bool {
        &&& self.game_object is None
        &&& after.builder == self.builder
        &&& after.time == 0
        &&& after.max_time == self.builder.loop_time()
        &&& self.builder.may_yield(center, after.game_object)
    }

    /// Lists what the preview shows: the object, while there is one.
    pub fn draw(&self) -> (shapes: Vec<Graphic>)
        ensures
            self.game_object matches Some(game_object) ==> shapes@ == game_object.shapes(),
            self.game_object is None ==> shapes@.len() == 0,
    {
        match &self.game_object {
            Some(game_object) => game_object.draw(),
            None => Vec::new(),
        }
    }

    /// Lists the shapes that show the recipe's settings around `center`.
    pub fn draw_gizmos(&self, center: CenterPt) -> (shapes: Vec<Graphic>)
        ensures
            shapes@ == self.builder.gizmo_shapes(center),
    {
        self.builder.draw_gizmos_at(center)
    }

    /// One frame of the preview.
    pub fn update(&mut self, delta_time: i32, center: CenterPt)
        requires
            old(self).builder.buildable(),
        ensures
            old(self).game_object is Some ==> old(self).runs_to(delta_time, *final(self)),
            old(self).game_object is None ==> old(self).restarts_to(center, *final(self)),
    {
        if self.game_object.is_some() {
            self.time = plus(self.time, delta_time);
            match &mut self.game_object {
                Some(game_obj) => {
                    game_obj.update(delta_time);
                },
                None => {},
            }
            if self.time >= self.max_time {
                self.game_object = None;
            }
        } else {
            let builder = self.builder.clone();
            proof {
                self.builder.lemma_clone_builds_alike(&builder);
            }
            self.game_object = builder.build(center);
            self.time = 0;
            self.max_time = self.builder.max_loop_time();
        }
    }
}

} // verus!
