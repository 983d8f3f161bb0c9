//! The payload of the drag-and-drop session that a press on the widget
//! starts: one private MIME type, carrying a fixed marker.

use vstd::prelude::*;
use vstd::string::StringSliceAdditionalSpecFns;

verus! {

/// The MIME type offered and accepted by the widget's own drag session.
pub const MIME: &'static str = "X-COSMIC-PORTAL-MyData";

/// The bytes offered under [`MIME`].
pub const PAYLOAD: &'static str = "rectangle";

/// The data of the widget's drag session. It carries nothing: the session
/// exists only to track the pointer while the selection is dragged.
#[derive(Debug, Clone, Copy, PartialEq, Eq, Structural)]
pub struct MyData;

impl From<(Vec<u8>, String)> for MyData {
    /// Received data, whatever it holds, is the marker.
    fn from(_data: (Vec<u8>, String)) -> (res: MyData) {
        MyData
    }
}

impl vstd::std_specs::convert::FromSpecImpl<(Vec<u8>, String)> for MyData {
    open spec fn obeys_from_spec() -> bool {
        true
    }

    open spec fn from_spec(v: (Vec<u8>, String)) -> MyData {
        MyData
    }
}

impl MyData {
    /// The MIME types the widget accepts: [`MIME`] alone.
    pub fn allowed() -> (res: Vec<String>)
        ensures
            res@.len() == 1,
            res@[0]@ == MIME@,
    {
        let mut res: Vec<String> = Vec::new();
        res.push(MIME.to_owned());
        res
    }

    /// The MIME types this data is offered as: [`MIME`] alone.
    pub fn available(&self) -> (res: Vec<String>)
        ensures
            res@.len() == 1,
            res@[0]@ == MIME@,
    {
        MyData::allowed()
    }

    /// The bytes offered for any requested type: those of [`PAYLOAD`].
    pub fn as_bytes(&self, _mime: &str) -> (res: Option<Vec<u8>>)
        ensures
            res matches Some(b) && b@ == PAYLOAD.spec_bytes(),
    {
        Some(vstd::slice::slice_to_vec(PAYLOAD.as_bytes()))
    }
}

} // verus!
