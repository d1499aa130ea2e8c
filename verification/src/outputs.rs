//! The live outputs: a texture share for OBS, and a virtual camera. Both exist
//! on Windows only; elsewhere sending is done at once.

use vstd::prelude::*;

verus! {

/// What to do to send a picture to the texture share.
#[derive(Clone, Copy, Debug, PartialEq, Eq, Structural)]
pub enum SpoutStep {
    /// Nothing.
    Skip,
    /// Make a sender of the output's name, then send.
    Create,
    /// Send.
    Send,
}

/// The texture share.
pub struct SpoutOutput {
    pub name: String,
    pub supported: bool,
    /// Whether there is a sender.
    pub open: bool,
}

impl SpoutOutput {
    /// An output of that name, without a sender yet.
    pub fn new(name: &str, supported: bool) -> (out: SpoutOutput)
        ensures
            out.name@ == name@,
            out.supported == supported,
            !out.open,
    {
        SpoutOutput { name: name.to_owned(), supported, open: false }
    }

    /// What to do to send a picture: the sender is made with the first.
    pub open spec fn step(&self) -> SpoutStep {
        if !self.supported {
            SpoutStep::Skip
        } else if !self.open {
            SpoutStep::Create
        } else {
            SpoutStep::Send
        }
    }

    /// What to do to send a picture.
    pub fn send(&self) -> (step: SpoutStep)
        ensures
            step == self.step(),
    {
        if !self.supported {
            SpoutStep::Skip
        } else if !self.open {
            SpoutStep::Create
        } else {
            SpoutStep::Send
        }
    }

    /// The sender has been made.
    pub fn on_created(&mut self)
        ensures
            *final(self) == (SpoutOutput { open: true, ..*old(self) }),
    {
        self.open = true;
    }
}

/// What to do to send a picture to the camera.
#[derive(Clone, Copy, Debug, PartialEq, Eq, Structural)]
pub enum CamStep {
    /// Nothing.
    Skip,
    /// Open a camera of the picture's size, then send.
    Open,
    /// Send.
    Send,
}

/// The virtual camera.
pub struct VirtualCamOutput {
    pub supported: bool,
    /// The size of the camera that is open.
    pub camera: Option<(u32, u32)>,
}

impl VirtualCamOutput {
    /// An output without a camera yet.
    pub fn new(supported: bool) -> (out: VirtualCamOutput)
        ensures
            out.supported == supported,
            out.camera is None,
    {
        VirtualCamOutput { supported, camera: None }
    }

    /// What to do to send a picture of that size: the camera is opened with the
    /// first, and again where the size has changed.
    pub open spec fn step(&self, w: u32, h: u32) -> CamStep {
        if !self.supported {
            CamStep::Skip
        } else if self.camera == Some((w, h)) {
            CamStep::Send
        } else {
            CamStep::Open
        }
    }

    /// What to do to send a picture of that size.
    pub fn send(&self, w: u32, h: u32) -> (step: CamStep)
        ensures
            step == self.step(w, h),
    {
        if !self.supported {
            return CamStep::Skip;
        }
        match self.camera {
            Some((cw, ch)) => if cw == w && ch == h {
                CamStep::Send
            } else {
                CamStep::Open
            },
            None => CamStep::Open,
        }
    }

    /// A camera of that size has been opened.
    pub fn on_opened(&mut self, w: u32, h: u32)
        ensures
            *final(self) == (VirtualCamOutput { camera: Some((w, h)), ..*old(self) }),
    {
        self.camera = Some((w, h));
    }
}

/// A picture is only ever sent into a camera of its own size.
pub proof fn law_camera_fits_picture(out: VirtualCamOutput, w: u32, h: u32)
    requires
        out.supported,
    ensures
        out.step(w, h) is Send ==> out.camera == Some((w, h)),
        (VirtualCamOutput { camera: Some((w, h)), ..out }).step(w, h) is Send,
{
}

} // verus!
