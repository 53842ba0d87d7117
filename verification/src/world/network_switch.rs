//! The `NetworkSwitch` kind of game-world object.

use vstd::prelude::*;

use super::{ObjectHandle, ObjectType, StringField, WorldObject};

verus! {

/// A network switch in the game world.
#[derive(Debug, Clone)]
pub struct NetworkSwitch {
    handle: ObjectHandle,
    id: String,
}

impl NetworkSwitch {
    /// The object's handle.
    pub closed spec fn spec_handle(&self) -> ObjectHandle {
        self.handle
    }

    /// The object's stable identifier.
    pub closed spec fn spec_id(&self) -> Seq<char> {
        self.id@
    }

    /// Builds the object from its handle and identifier.
    pub fn new(handle: ObjectHandle, id: String) -> (o: Self)
        ensures
            o.spec_handle() == handle,
            o.spec_id() == id@,
    {
        NetworkSwitch { handle, id }
    }

    /// The stable identifier.
    pub fn switch_id(&self) -> (s: &str)
        ensures
            s@ == self.spec_id(),
    {
        self.id.as_str()
    }
}

impl WorldObject for NetworkSwitch {
    fn object_type() -> (t: ObjectType)
        ensures
            t == ObjectType(4),
    {
        ObjectType::network_switch()
    }

    fn id_field() -> (f: StringField)
        ensures
            f == StringField(1),
    {
        StringField::switch_id()
    }

    fn from_handle(handle: ObjectHandle, id: String) -> (o: Self)
        ensures
            o.spec_handle() == handle,
            o.spec_id() == id@,
    {
        NetworkSwitch::new(handle, id)
    }

    fn handle(&self) -> (h: ObjectHandle)
        ensures
            h == self.spec_handle(),
    {
        self.handle
    }

    fn id(&self) -> (s: &str)
        ensures
            s@ == self.spec_id(),
    {
        self.id.as_str()
    }
}

} // verus!
