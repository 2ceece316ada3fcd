//! Reading the boat's camera.

use vstd::prelude::*;
use crate::remote::controller::RemoteController;
use crate::remote::net::{HttpRequest, Method};

verus! {

/// The server path that returns the camera's current image.
pub open spec fn camera_read_path() -> Seq<char> {
    "/camera/read"@
}

impl RemoteController {
    /// The GET request whose body is the camera's image, to be downloaded
    /// into a file.
    pub fn read_camera_request(&self) -> (req: HttpRequest)
        ensures
            req.method == Method::Get,
            req.url@ == self.net.address@ + camera_read_path(),
            req.body is None,
    {
        self.net.get_request("/camera/read")
    }
}

} // verus!
