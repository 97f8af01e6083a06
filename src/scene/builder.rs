//! A builder for node descriptions.
use vstd::prelude::*;
use crate::transform::{Transform, identity_spec};
use super::{GameNodeDesc, GameNodeId, GameNodeVisual};

verus! {

/// Builds a `GameNodeDesc` field by field, starting from the default one.
#[derive(Clone, Debug)]
pub struct GameNodeDescBuilder {
    transform: Transform,
    skin_index: Option<usize>,
    visual: Option<GameNodeVisual>,
    name: Option<String>,
    parent_id: Option<GameNodeId>,
}

impl View for GameNodeDescBuilder {
    type V = GameNodeDesc;

    /// The description that `build` returns.
    closed spec fn view(&self) -> GameNodeDesc {
        GameNodeDesc {
            transform: self.transform,
            skin_index: self.skin_index,
            visual: self.visual,
            name: self.name,
            parent_id: self.parent_id,
        }
    }
}

impl GameNodeDescBuilder {
    /// A builder holding the default description: identity transform, no
    /// skin, visual, name or parent.
    pub fn new() -> (r: Self)
        ensures
            r@.transform == identity_spec(),
            r@.skin_index is None,
            r@.visual is None,
            r@.name is None,
            r@.parent_id is None,
    {
        let GameNodeDesc { transform, skin_index, visual, name, parent_id } = GameNodeDesc::default();
        Self { transform, skin_index, visual, name, parent_id }
    }

    pub fn transform(self, transform: Transform) -> (r: Self)
        ensures
            r@ == (GameNodeDesc { transform, ..self@ }),
    {
        let mut b = self;
        b.transform = transform;
        b
    }

    pub fn skin_index(self, skin_index: Option<usize>) -> (r: Self)
        ensures
            r@ == (GameNodeDesc { skin_index, ..self@ }),
    {
        let mut b = self;
        b.skin_index = skin_index;
        b
    }

    pub fn visual(self, visual: Option<GameNodeVisual>) -> (r: Self)
        ensures
            r@ == (GameNodeDesc { visual, ..self@ }),
    {
        let mut b = self;
        b.visual = visual;
        b
    }

    pub fn name(self, name: Option<String>) -> (r: Self)
        ensures
            r@ == (GameNodeDesc { name, ..self@ }),
    {
        let mut b = self;
        b.name = name;
        b
    }

    pub fn parent_id(self, parent_id: Option<GameNodeId>) -> (r: Self)
        ensures
            r@ == (GameNodeDesc { parent_id, ..self@ }),
    {
        let mut b = self;
        b.parent_id = parent_id;
        b
    }

    /// The description built so far.
    pub fn build(self) -> (r: GameNodeDesc)
        ensures
            r == self@,
    {
        GameNodeDesc {
            transform: self.transform,
            skin_index: self.skin_index,
            visual: self.visual,
            name: self.name,
            parent_id: self.parent_id,
        }
    }
}

impl Default for GameNodeDescBuilder {
    fn default() -> (r: Self)
        ensures
            r@.transform == identity_spec(),
            r@.skin_index is None,
            r@.visual is None,
            r@.name is None,
            r@.parent_id is None,
    {
        Self::new()
    }
}

} // verus!
