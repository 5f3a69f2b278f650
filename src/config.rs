use vstd::prelude::*;

verus! {

/// Settings as given on the command line.
#[derive(Clone, Copy, Debug)]
pub struct RawConfig {
    /// Scale factor for the window.
    pub scale: u8,
}

/// Settings the program runs with.
#[derive(Clone, Copy, Debug)]
pub struct CleanConfig {
    /// Scale factor for the window.
    pub scale: u8,
}

impl RawConfig {
    pub fn clean(self) -> (r: CleanConfig)
        ensures
            r.scale == self.scale,
    {
        CleanConfig { scale: self.scale }
    }
}

} // verus!
