//! The `Server` kind of game-world object.

use vstd::prelude::*;

use super::{ObjectHandle, ObjectType, StringField, WorldObject};

verus! {

/// A server object (1U, 3U or 7U) in the game world.
#[derive(Debug, Clone)]
pub struct Server {
    handle: ObjectHandle,
    id: String,
}

impl Server {
    /// The object's handle.
    pub closed spec fn spec_handle(&self) -> ObjectHandle {
        self.handle
    }

    /// The object's stable identifier.
    pub closed spec fn spec_id(&self) -> Seq<char> {
        self.id@
    }

    /// Builds the object from its handle and identifier.
    pub fn new(handle: ObjectHandle, id: String) -> (o: Self)
        ensures
            o.spec_handle() == handle,
            o.spec_id() == id@,
    {
        Server { handle, id }
    }

    /// The stable identifier.
    pub fn server_id(&self) -> (s: &str)
        ensures
            s@ == self.spec_id(),
    {
        self.id.as_str()
    }
}

impl WorldObject for Server {
    fn object_type() -> (t: ObjectType)
        ensures
            t == ObjectType(0),
    {
        ObjectType::server()
    }

    fn id_field() -> (f: StringField)
        ensures
            f == StringField(0),
    {
        StringField::server_id()
    }

    fn from_handle(handle: ObjectHandle, id: String) -> (o: Self)
        ensures
            o.spec_handle() == handle,
            o.spec_id() == id@,
    {
        Server::new(handle, id)
    }

    fn handle(&self) -> (h: ObjectHandle)
        ensures
            h == self.spec_handle(),
    {
        self.handle
    }

    fn id(&self) -> (s: &str)
        ensures
            s@ == self.spec_id(),
    {
        self.id.as_str()
    }
}

} // verus!
