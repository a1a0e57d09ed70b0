//! The application shell: the pages, the mutable layout state, and the one
//! interaction the shell reacts to — the button that collapses or expands the
//! side panel. The panel's width is a function of its open/closed flag alone:
//! narrow while closed, wide while open, nothing in between.

use vstd::prelude::*;

use crate::watermark::{Watermark, WatermarkError};

verus! {

/// Width of the side panel, in pixels, while it is collapsed.
pub const SIDEPANEL_CLOSED_WIDTH: u32 = 40;

/// Width of the side panel, in pixels, while it is expanded.
pub const SIDEPANEL_OPEN_WIDTH: u32 = 160;

/// The width the side panel must have for a given open/closed flag.
pub open spec fn panel_width_for(on: bool) -> u32 {
    if on {
        SIDEPANEL_OPEN_WIDTH
    } else {
        SIDEPANEL_CLOSED_WIDTH
    }
}

/// The pages the shell can show. One is active at a time; no navigation
/// action transitions between them yet.
#[derive(Clone, Copy, Debug, PartialEq, Eq, Structural)]
pub enum Pages {
    Adb,
    Frida,
    LibtoolInject,
}

/// The shell's mutable layout state: font sizes, padding, and the side
/// panel's width and open/closed flag. All sizes are in pixels.
#[derive(Clone, Copy, Debug, PartialEq, Eq, Structural)]
pub struct UiState {
    pub label_font_size: u32,
    pub heading_font_size: u32,
    pub sidepanel_width: u32,
    pub sidepanel_on: bool,
    pub padding: u32,
}

impl UiState {
    /// The state is well formed when the panel width agrees with the flag:
    /// exactly the closed width while closed, exactly the open width while
    /// open.
    pub open spec fn wf(self) -> bool {
        self.sidepanel_width == panel_width_for(self.sidepanel_on)
    }

    /// What one press of the panel button does: the flag flips, and the
    /// width follows it in lock-step. Nothing else moves.
    pub open spec fn spec_toggle(self) -> UiState {
        UiState {
            sidepanel_on: !self.sidepanel_on,
            sidepanel_width: panel_width_for(!self.sidepanel_on),
            ..self
        }
    }

    /// The state at startup: default fonts and padding, panel collapsed.
    pub open spec fn initial_spec() -> UiState {
        UiState {
            label_font_size: 16,
            heading_font_size: 20,
            sidepanel_width: SIDEPANEL_CLOSED_WIDTH,
            sidepanel_on: false,
            padding: 10,
        }
    }

    /// Builds the startup state.
    pub fn initial() -> (r: UiState)
        ensures
            r == UiState::initial_spec(),
            r.wf(),
    {
        UiState {
            label_font_size: 16,
            heading_font_size: 20,
            sidepanel_width: SIDEPANEL_CLOSED_WIDTH,
            sidepanel_on: false,
            padding: 10,
        }
    }

    /// Flips the panel's open/closed flag and sets the width that belongs to
    /// the new flag.
    pub fn toggle_sidepanel(&mut self)
        ensures
            *final(self) == old(self).spec_toggle(),
            final(self).wf(),
    {
        if self.sidepanel_on {
            self.sidepanel_on = false;
            self.sidepanel_width = SIDEPANEL_CLOSED_WIDTH;
        } else {
            self.sidepanel_on = true;
            self.sidepanel_width = SIDEPANEL_OPEN_WIDTH;
        }
    }
}

/// The state after `n` presses of the panel button, starting from `s`.
pub open spec fn spec_toggle_n(s: UiState, n: nat) -> UiState
    decreases n,
{
    if n == 0 {
        s
    } else {
        spec_toggle_n(s, (n - 1) as nat).spec_toggle()
    }
}

/// However the state began, every press leaves the panel width in agreement
/// with the flag: exactly the closed width when closed, exactly the open
/// width when open.
pub proof fn lemma_toggle_establishes_wf(s: UiState)
    ensures
        s.spec_toggle().wf(),
{
}

/// Along any sequence of presses from a well-formed state, the width stays
/// exactly the closed width while the flag is off and exactly the open width
/// while it is on.
pub proof fn lemma_width_determined_by_flag(s: UiState, n: nat)
    requires
        s.wf(),
    ensures
        spec_toggle_n(s, n).wf(),
    decreases n,
{
    if n > 0 {
        lemma_width_determined_by_flag(s, (n - 1) as nat);
    }
}

/// Two presses in a row bring a well-formed state back to exactly where it
/// was.
pub proof fn lemma_double_toggle_identity(s: UiState)
    requires
        s.wf(),
    ensures
        s.spec_toggle().spec_toggle() == s,
{
}

/// An even number of presses returns the open/closed flag — and with it, from
/// a well-formed state, the whole state — to its initial value.
pub proof fn lemma_even_toggles_identity(s: UiState, n: nat)
    requires
        s.wf(),
        n % 2 == 0,
    ensures
        spec_toggle_n(s, n) == s,
    decreases n,
{
    if n > 0 {
        lemma_even_toggles_identity(s, (n - 2) as nat);
        lemma_width_determined_by_flag(s, (n - 2) as nat);
        assert(spec_toggle_n(s, (n - 1) as nat) == spec_toggle_n(s, (n - 2) as nat).spec_toggle());
    }
}

/// The flag after `n` presses, from any state: unchanged when `n` is even,
/// flipped when `n` is odd.
pub proof fn lemma_toggle_parity(s: UiState, n: nat)
    ensures
        spec_toggle_n(s, n).sidepanel_on == if n % 2 == 0 {
            s.sidepanel_on
        } else {
            !s.sidepanel_on
        },
    decreases n,
{
    if n > 0 {
        lemma_toggle_parity(s, (n - 1) as nat);
    }
}

/// The whole shell: the active page, the layout state, and the decoded
/// watermark.
pub struct Droidium {
    pub current_page: Pages,
    pub ui: UiState,
    pub watermark: Watermark,
}

impl Droidium {
    /// Builds the shell from the bundled image's bytes. Succeeds exactly when
    /// the bytes decode as an image; the shell then starts on the ADB page
    /// with the startup layout state and the decoded watermark. An
    /// undecodable image is the one failure mode, and it is fatal to
    /// initialization: no shell is produced.
    pub fn new(bytes: &[u8]) -> (r: Result<Droidium, WatermarkError>)
        ensures
            match r {
                Ok(shell) => {
                    &&& crate::watermark::rgba_decoding(bytes@) == Some(
                        (shell.watermark.width, shell.watermark.height, shell.watermark.pixels@),
                    )
                    &&& shell.watermark.wf()
                    &&& shell.ui == UiState::initial_spec()
                    &&& shell.current_page == Pages::Adb
                },
                Err(e) => {
                    &&& crate::watermark::rgba_decoding(bytes@) is None
                    &&& e == WatermarkError::InvalidImage
                },
            },
    {
        let watermark = Watermark::from_bytes(bytes)?;
        Ok(Droidium { current_page: Pages::Adb, ui: UiState::initial(), watermark })
    }

    /// One frame's worth of decisions: if the panel button was clicked this
    /// frame, toggle the panel; otherwise nothing changes. The page and the
    /// watermark never move here.
    pub fn on_menu_button(&mut self, clicked: bool)
        ensures
            final(self).ui == if clicked {
                old(self).ui.spec_toggle()
            } else {
                old(self).ui
            },
            final(self).current_page == old(self).current_page,
            final(self).watermark == old(self).watermark,
    {
        if clicked {
            self.ui.toggle_sidepanel();
        }
    }
}

} // verus!
