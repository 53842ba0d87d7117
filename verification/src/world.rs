//! Handles, type codes and field codes of game-world objects, and the
//! built-in object kinds.

pub mod network_switch;
pub mod patch_panel;
pub mod registry;
pub mod server;

pub use network_switch::NetworkSwitch;
pub use patch_panel::PatchPanel;

pub use registry::ObjectIdRegistry;
pub use server::Server;

use vstd::prelude::*;

verus! {

/// Opaque handle to a game object. Valid only for the current operation;
/// the value 0 never names a live object.
#[derive(Debug, Clone, Copy, PartialEq, Eq, Hash, Structural)]
pub struct ObjectHandle(pub u64);

impl ObjectHandle {
    /// The handle that names no object.
    pub fn invalid() -> (h: ObjectHandle)
        ensures
            h.0 == 0,
    {
        ObjectHandle(0)
    }

    /// A handle is valid exactly when it is non-zero.
    pub fn is_valid(self) -> (b: bool)
        ensures
            b == (self.0 != 0),
    {
        self.0 != 0
    }
}

impl From<u64> for ObjectHandle {
    fn from(v: u64) -> (h: ObjectHandle) {
        ObjectHandle(v)
    }
}

impl vstd::std_specs::convert::FromSpecImpl<u64> for ObjectHandle {
    open spec fn obeys_from_spec() -> bool {
        true
    }

    open spec fn from_spec(v: u64) -> ObjectHandle {
        ObjectHandle(v)
    }
}

impl From<ObjectHandle> for u64 {
    fn from(h: ObjectHandle) -> (v: u64) {
        h.0
    }
}

impl vstd::std_specs::convert::FromSpecImpl<ObjectHandle> for u64 {
    open spec fn obeys_from_spec() -> bool {
        true
    }

    open spec fn from_spec(h: ObjectHandle) -> u64 {
        h.0
    }
}

/// Object type code used to search the game for objects of one kind. A
/// newtype, so other crates can define further codes.
#[derive(Debug, Clone, Copy, PartialEq, Eq, Hash, Structural)]
pub struct ObjectType(pub u8);

impl ObjectType {
    /// Servers (1U, 3U and 7U).
    pub fn server() -> (t: ObjectType)
        ensures
            t.0 == 0,
    {
        ObjectType(0)
    }

    /// Network switches.
    pub fn network_switch() -> (t: ObjectType)
        ensures
            t.0 == 4,
    {
        ObjectType(4)
    }

    /// Patch panels.
    pub fn patch_panel() -> (t: ObjectType)
        ensures
            t.0 == 7,
    {
        ObjectType(7)
    }
}

/// Code of a string field read from or written to a game object.
#[derive(Debug, Clone, Copy, PartialEq, Eq, Hash, Structural)]
pub struct StringField(pub u16);

impl StringField {
    /// `Server.ServerID`.
    pub fn server_id() -> (f: StringField)
        ensures
            f.0 == 0,
    {
        StringField(0)
    }

    /// `NetworkSwitch.SwitchId`.
    pub fn switch_id() -> (f: StringField)
        ensures
            f.0 == 1,
    {
        StringField(1)
    }

    /// `Server.RackPositionUID`.
    pub fn rack_position_uid() -> (f: StringField)
        ensures
            f.0 == 2,
    {
        StringField(2)
    }

    /// `GameObject.Name`.
    pub fn game_object_name() -> (f: StringField)
        ensures
            f.0 == 3,
    {
        StringField(3)
    }

    /// `PatchPanel.PatchPanelId`.
    pub fn patch_panel_id() -> (f: StringField)
        ensures
            f.0 == 4,
    {
        StringField(4)
    }
}

/// A kind of game-world object: which type code finds it, which string field
/// holds its stable identifier, and how to build one from a handle and that
/// identifier.
pub trait WorldObject: Sized {
    /// The type code used to search for objects of this kind.
    fn object_type() -> ObjectType;

    /// The string field that holds this kind's stable identifier.
    fn id_field() -> StringField;

    /// Builds the object from its handle and prefetched identifier.
    fn from_handle(handle: ObjectHandle, id: String) -> Self;

    /// The object's handle.
    fn handle(&self) -> ObjectHandle;

    /// The object's cached stable identifier.
    fn id(&self) -> &str;
}

} // verus!
