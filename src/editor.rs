use vstd::prelude::*;

verus! {

/// A handle to an open editor window, through which the plugin side asks the
/// window to act.
pub trait EditorHandle: Send + Sync {
    /// Close the editor.
    fn quit(&self);

    /// The current size of the editor, as width and height.
    fn size(&self) -> (u32, u32);

    /// Resize the editor.
    fn resize(&self, width: u32, height: u32);

    /// Whether the editor can be resized.
    fn resizable(&self) -> bool;

    /// Ask the editor to rebuild its view after state changed out of band.
    fn rebuild(&self);
}

} // verus!
