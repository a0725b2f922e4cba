use vstd::prelude::*;

verus! {

/// Whether a cape texture is loaded and whether the user wants it shown.
#[derive(Debug, Clone, Copy, PartialEq, Eq, Structural)]
pub struct CapeRenderState {
    loaded: bool,
    visible: bool,
}

impl CapeRenderState {
    pub closed spec fn is_loaded(self) -> bool {
        self.loaded
    }

    pub closed spec fn is_visible(self) -> bool {
        self.visible
    }

    /// A cape is only ever marked visible while one is loaded.
    pub open spec fn wf(self) -> bool {
        self.is_visible() ==> self.is_loaded()
    }

    pub fn new() -> (s: Self)
        ensures
            !s.is_loaded(),
            !s.is_visible(),
            s.wf(),
    {
        CapeRenderState { loaded: false, visible: false }
    }

    /// A freshly loaded cape is shown.
    pub fn mark_loaded(&mut self)
        ensures
            final(self).is_loaded(),
            final(self).is_visible(),
            final(self).wf(),
    {
        self.loaded = true;
        self.visible = true;
    }

    pub fn clear(&mut self)
        ensures
            !final(self).is_loaded(),
            !final(self).is_visible(),
            final(self).wf(),
    {
        self.loaded = false;
        self.visible = false;
    }

    /// Shows or hides the cape; without a loaded cape it stays hidden. Returns
    /// the status message.
    pub fn set_visible(&mut self, visible: bool) -> (m: &'static str)
        ensures
            final(self).is_loaded() == old(self).is_loaded(),
            final(self).is_visible() == (old(self).is_loaded() && visible),
            final(self).wf(),
            !old(self).is_loaded() ==> m@ == "No cape loaded"@,
            old(self).is_loaded() && visible ==> m@ == "Cape enabled"@,
            old(self).is_loaded() && !visible ==> m@ == "Cape disabled"@,
    {
        if !self.loaded {
            self.visible = false;
            return "No cape loaded";
        }
        self.visible = visible;
        if visible {
            "Cape enabled"
        } else {
            "Cape disabled"
        }
    }

    pub fn should_render(self) -> (b: bool)
        ensures
            b == (self.is_loaded() && self.is_visible()),
    {
        self.loaded && self.visible
    }
}

impl Default for CapeRenderState {
    fn default() -> (s: Self)
        ensures
            !s.is_loaded(),
            !s.is_visible(),
    {
        Self::new()
    }
}

/// In every state the operations reach, the cape renders exactly when it is
/// visible, and never without a loaded cape.
pub proof fn lemma_cape_renders_iff_visible(s: CapeRenderState)
    requires
        s.wf(),
    ensures
        (s.is_loaded() && s.is_visible()) == s.is_visible(),
{
}

} // verus!
