//! The `PatchPanel` kind of game-world object.

use vstd::prelude::*;

use super::{ObjectHandle, ObjectType, StringField, WorldObject};

verus! {

/// A patch panel in the game world.
#[derive(Debug, Clone)]
pub struct PatchPanel {
    handle: ObjectHandle,
    id: String,
}

impl PatchPanel {
    /// The object's handle.
    pub closed spec fn spec_handle(&self) -> ObjectHandle {
        self.handle
    }

    /// The object's stable identifier.
    pub closed spec fn spec_id(&self) -> Seq<char> {
        self.id@
    }

    /// Builds the object from its handle and identifier.
    pub fn new(handle: ObjectHandle, id: String) -> (o: Self)
        ensures
            o.spec_handle() == handle,
            o.spec_id() == id@,
    {
        PatchPanel { handle, id }
    }

    /// The stable identifier.
    pub fn patch_panel_id(&self) -> (s: &str)
        ensures
            s@ == self.spec_id(),
    {
        self.id.as_str()
    }
}

impl WorldObject for PatchPanel {
    fn object_type() -> (t: ObjectType)
        ensures
            t == ObjectType(7),
    {
        ObjectType::patch_panel()
    }

    fn id_field() -> (f: StringField)
        ensures
            f == StringField(4),
    {
        StringField::patch_panel_id()
    }

    fn from_handle(handle: ObjectHandle, id: String) -> (o: Self)
        ensures
            o.spec_handle() == handle,
            o.spec_id() == id@,
    {
        PatchPanel::new(handle, id)
    }

    fn handle(&self) -> (h: ObjectHandle)
        ensures
            h == self.spec_handle(),
    {
        self.handle
    }

    fn id(&self) -> (s: &str)
        ensures
            s@ == self.spec_id(),
    {
        self.id.as_str()
    }
}

} // verus!
